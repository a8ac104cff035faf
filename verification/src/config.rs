//! The server's configuration: its port and its replication state, and the
//! texts that `INFO` reports of them.

use vstd::prelude::*;

use crate::DEFAULT_PORT;
use crate::text::{dec_chars, is_digit, lemma_dec_chars, lowercase, push_decimal, str_eq, str_to_lowercase, string_push};
use crate::util::{is_alphanumeric_char, random_string};

verus! {

/// The role of a server in replication.
#[derive(Debug, Clone, PartialEq, Eq, Structural)]
pub enum ReplicationRole {
    Master,
    Slave,
}

/// The role a name stands for, ignoring case.
pub open spec fn role_named(lower: Seq<char>) -> Option<ReplicationRole> {
    if lower == "master"@ {
        Some(ReplicationRole::Master)
    } else if lower == "slave"@ {
        Some(ReplicationRole::Slave)
    } else {
        None
    }
}

/// The name of a role.
pub open spec fn role_text(role: ReplicationRole) -> Seq<char> {
    match role {
        ReplicationRole::Master => "master"@,
        ReplicationRole::Slave => "slave"@,
    }
}

/// Each role's name names that role.
pub proof fn lemma_role_names(role: ReplicationRole)
    ensures
        role_named(role_text(role)) == Some(role),
{
    reveal_strlit("master");
    reveal_strlit("slave");
    assert("slave"@.len() != "master"@.len());
}

impl ReplicationRole {
    /// The role that `s` names, ignoring case.
    pub fn from(s: &str) -> (role: ReplicationRole)
        requires
            role_named(lowercase(s@)) is Some,
        ensures
            role_named(lowercase(s@)) == Some(role),
    {
        let lower = str_to_lowercase(s);
        if str_eq(lower.as_str(), "master") {
            ReplicationRole::Master
        } else {
            ReplicationRole::Slave
        }
    }

    /// The role that `s` names, ignoring case, or `None` where it names none.
    pub fn from_name(s: &str) -> (role: Option<ReplicationRole>)
        ensures
            role == role_named(lowercase(s@)),
    {
        let lower = str_to_lowercase(s);
        if str_eq(lower.as_str(), "master") || str_eq(lower.as_str(), "slave") {
            Some(ReplicationRole::from(s))
        } else {
            None
        }
    }

    /// The name of the role.
    pub fn to_string(&self) -> (s: String)
        ensures
            s@ == role_text(*self),
    {
        match self {
            ReplicationRole::Master => String::from_str("master"),
            ReplicationRole::Slave => String::from_str("slave"),
        }
    }
}

/// The server part of the configuration.
#[derive(Debug, Clone)]
pub struct ServerConfig {
    tcp_port: u16,
}

/// The text `INFO server` reports.
pub open spec fn server_text(tcp_port: u16) -> Seq<char> {
    "# Server\ntcp_port:"@ + dec_chars(tcp_port as nat) + "\n"@
}

impl View for ServerConfig {
    /// The port.
    type V = u16;

    closed spec fn view(&self) -> u16 {
        self.tcp_port
    }
}

impl ServerConfig {
    /// The text of this part, as `INFO server` reports it.
    pub fn to_string(&self) -> (s: String)
        ensures
            s@ == server_text(self@),
    {
        let mut s = String::from_str("# Server\ntcp_port:");
        push_decimal(&mut s, self.tcp_port as u64);
        s.append("\n");
        s
    }
}

/// The replication part of the configuration, by value.
pub struct ReplicationState {
    pub role: ReplicationRole,
    pub connected_slaves: usize,
    pub master_replid: Seq<char>,
    pub master_repl_offset: usize,
    pub second_repl_offset: usize,
    pub repl_backlog_active: usize,
    pub repl_backlog_size: usize,
    pub repl_backlog_first_byte_offset: usize,
    pub repl_backlog_histlen: usize,
}

/// The replication part of the configuration.
#[derive(Debug, Clone)]
pub struct ReplicationConfig {
    role: ReplicationRole,
    connected_slaves: usize,
    master_replid: String,
    master_repl_offset: usize,
    second_repl_offset: usize,
    repl_backlog_active: usize,
    repl_backlog_size: usize,
    repl_backlog_first_byte_offset: usize,
    repl_backlog_histlen: usize,
}

impl View for ReplicationConfig {
    type V = ReplicationState;

    closed spec fn view(&self) -> ReplicationState {
        ReplicationState {
            role: self.role,
            connected_slaves: self.connected_slaves,
            master_replid: self.master_replid@,
            master_repl_offset: self.master_repl_offset,
            second_repl_offset: self.second_repl_offset,
            repl_backlog_active: self.repl_backlog_active,
            repl_backlog_size: self.repl_backlog_size,
            repl_backlog_first_byte_offset: self.repl_backlog_first_byte_offset,
            repl_backlog_histlen: self.repl_backlog_histlen,
        }
    }
}

/// The lines of the text `INFO replication` reports, without their line breaks.
pub open spec fn replication_lines(r: ReplicationState) -> Seq<Seq<char>> {
    seq![
        "# Replication"@,
        "role:"@ + role_text(r.role),
        "connected_slaves:"@ + dec_chars(r.connected_slaves as nat),
        "master_replid:"@ + r.master_replid,
        "master_repl_offset:"@ + dec_chars(r.master_repl_offset as nat),
        "second_repl_offset:"@ + dec_chars(r.second_repl_offset as nat),
        "repl_backlog_active:"@ + dec_chars(r.repl_backlog_active as nat),
        "repl_backlog_size:"@ + dec_chars(r.repl_backlog_size as nat),
        "repl_backlog_first_byte_offset:"@ + dec_chars(r.repl_backlog_first_byte_offset as nat),
        "repl_backlog_histlen:"@ + dec_chars(r.repl_backlog_histlen as nat),
    ]
}

/// Lines joined into a text, each ended by a line break.
pub open spec fn join_lines(lines: Seq<Seq<char>>) -> Seq<char>
    decreases lines.len(),
{
    if lines.len() == 0 {
        Seq::empty()
    } else {
        join_lines(lines.drop_last()) + lines.last() + seq!['\n']
    }
}

/// The text `INFO replication` reports: its lines, each ended by a line break.
pub open spec fn replication_text(r: ReplicationState) -> Seq<char> {
    join_lines(replication_lines(r))
}

proof fn lemma_join_step(lines: Seq<Seq<char>>, k: int)
    requires
        0 <= k < lines.len(),
    ensures
        join_lines(lines.take(k + 1)) == join_lines(lines.take(k)) + lines[k] + seq!['\n'],
{
    assert(lines.take(k + 1).drop_last() =~= lines.take(k));
}

/// Whether a text holds no line break.
pub open spec fn one_line(s: Seq<char>) -> bool {
    forall|i: int| 0 <= i < s.len() ==> s[i] != '\n'
}

proof fn lemma_one_line_concat(a: Seq<char>, b: Seq<char>)
    requires
        one_line(a),
        one_line(b),
    ensures
        one_line(a + b),
{
    assert forall|i: int| 0 <= i < (a + b).len() implies (a + b)[i] != '\n' by {
        if i >= a.len() {
            assert((a + b)[i] == b[i - a.len()]);
        }
    }
}

proof fn lemma_dec_chars_one_line(n: nat)
    ensures
        one_line(dec_chars(n)),
{
    lemma_dec_chars(n);
    assert forall|i: int| 0 <= i < dec_chars(n).len() implies dec_chars(n)[i] != '\n' by {
        assert(is_digit(dec_chars(n)[i] as u8));
    }
}

/// The text `INFO replication` reports is ten lines, each ended by a line
/// break and holding no other: the header, then `role`, `connected_slaves`,
/// `master_replid`, `master_repl_offset`, `second_repl_offset`,
/// `repl_backlog_active`, `repl_backlog_size`,
/// `repl_backlog_first_byte_offset` and `repl_backlog_histlen`, each as
/// `name:value`. The replication id of every configuration holds only
/// letters and digits (see `Config::replication`), so this holds of every
/// configuration's text.
pub proof fn lemma_replication_text_lines(r: ReplicationState)
    requires
        alphanumeric(r.master_replid),
    ensures
        replication_lines(r).len() == 10,
        replication_text(r) == join_lines(replication_lines(r)),
        forall|i: int| 0 <= i < 10 ==> one_line(#[trigger] replication_lines(r)[i]),
{
    let lines = replication_lines(r);
    assert(one_line(r.master_replid)) by {
        assert forall|i: int| 0 <= i < r.master_replid.len() implies r.master_replid[i] != '\n' by {
            assert(is_alphanumeric_char(r.master_replid[i]));
        }
    }
    assert(one_line(role_text(r.role))) by {
        reveal_strlit("master");
        reveal_strlit("slave");
    }
    assert(one_line("# Replication"@)) by {
        reveal_strlit("# Replication");
    }
    assert(one_line(lines[1])) by {
        reveal_strlit("role:");
        lemma_one_line_concat("role:"@, role_text(r.role));
    }
    assert(one_line(lines[2])) by {
        reveal_strlit("connected_slaves:");
        lemma_dec_chars_one_line(r.connected_slaves as nat);
        lemma_one_line_concat("connected_slaves:"@, dec_chars(r.connected_slaves as nat));
    }
    assert(one_line(lines[3])) by {
        reveal_strlit("master_replid:");
        lemma_one_line_concat("master_replid:"@, r.master_replid);
    }
    assert(one_line(lines[4])) by {
        reveal_strlit("master_repl_offset:");
        lemma_dec_chars_one_line(r.master_repl_offset as nat);
        lemma_one_line_concat("master_repl_offset:"@, dec_chars(r.master_repl_offset as nat));
    }
    assert(one_line(lines[5])) by {
        reveal_strlit("second_repl_offset:");
        lemma_dec_chars_one_line(r.second_repl_offset as nat);
        lemma_one_line_concat("second_repl_offset:"@, dec_chars(r.second_repl_offset as nat));
    }
    assert(one_line(lines[6])) by {
        reveal_strlit("repl_backlog_active:");
        lemma_dec_chars_one_line(r.repl_backlog_active as nat);
        lemma_one_line_concat("repl_backlog_active:"@, dec_chars(r.repl_backlog_active as nat));
    }
    assert(one_line(lines[7])) by {
        reveal_strlit("repl_backlog_size:");
        lemma_dec_chars_one_line(r.repl_backlog_size as nat);
        lemma_one_line_concat("repl_backlog_size:"@, dec_chars(r.repl_backlog_size as nat));
    }
    assert(one_line(lines[8])) by {
        reveal_strlit("repl_backlog_first_byte_offset:");
        lemma_dec_chars_one_line(r.repl_backlog_first_byte_offset as nat);
        lemma_one_line_concat("repl_backlog_first_byte_offset:"@, dec_chars(r.repl_backlog_first_byte_offset as nat));
    }
    assert(one_line(lines[9])) by {
        reveal_strlit("repl_backlog_histlen:");
        lemma_dec_chars_one_line(r.repl_backlog_histlen as nat);
        lemma_one_line_concat("repl_backlog_histlen:"@, dec_chars(r.repl_backlog_histlen as nat));
    }
}

/// Appends a line break.
fn end_line(s: &mut String)
    ensures
        final(s)@ == old(s)@ + seq!['\n'],
{
    string_push(s, '\n');
    assert(old(s)@.push('\n') =~= old(s)@ + seq!['\n']);
}

impl ReplicationConfig {
    /// The text of this part, as `INFO replication` reports it.
    pub fn to_string(&self) -> (s: String)
        ensures
            s@ == replication_text(self@),
    {
        let ghost lines = replication_lines(self@);
        let mut s = String::new();
        s.append("# Replication");
        end_line(&mut s);
        proof {
            lemma_join_step(lines, 0);
            assert(lines.take(0) =~= Seq::<Seq<char>>::empty());
            assert(s@ =~= join_lines(lines.take(1)));
        }
        let role = self.role.to_string();
        s.append("role:");
        s.append(role.as_str());
        end_line(&mut s);
        proof {
            lemma_join_step(lines, 1);
            assert(s@ =~= join_lines(lines.take(2)));
        }
        s.append("connected_slaves:");
        push_decimal(&mut s, self.connected_slaves as u64);
        end_line(&mut s);
        proof {
            lemma_join_step(lines, 2);
            assert(s@ =~= join_lines(lines.take(3)));
        }
        s.append("master_replid:");
        s.append(self.master_replid.as_str());
        end_line(&mut s);
        proof {
            lemma_join_step(lines, 3);
            assert(s@ =~= join_lines(lines.take(4)));
        }
        s.append("master_repl_offset:");
        push_decimal(&mut s, self.master_repl_offset as u64);
        end_line(&mut s);
        proof {
            lemma_join_step(lines, 4);
            assert(s@ =~= join_lines(lines.take(5)));
        }
        s.append("second_repl_offset:");
        push_decimal(&mut s, self.second_repl_offset as u64);
        end_line(&mut s);
        proof {
            lemma_join_step(lines, 5);
            assert(s@ =~= join_lines(lines.take(6)));
        }
        s.append("repl_backlog_active:");
        push_decimal(&mut s, self.repl_backlog_active as u64);
        end_line(&mut s);
        proof {
            lemma_join_step(lines, 6);
            assert(s@ =~= join_lines(lines.take(7)));
        }
        s.append("repl_backlog_size:");
        push_decimal(&mut s, self.repl_backlog_size as u64);
        end_line(&mut s);
        proof {
            lemma_join_step(lines, 7);
            assert(s@ =~= join_lines(lines.take(8)));
        }
        s.append("repl_backlog_first_byte_offset:");
        push_decimal(&mut s, self.repl_backlog_first_byte_offset as u64);
        end_line(&mut s);
        proof {
            lemma_join_step(lines, 8);
            assert(s@ =~= join_lines(lines.take(9)));
        }
        s.append("repl_backlog_histlen:");
        push_decimal(&mut s, self.repl_backlog_histlen as u64);
        end_line(&mut s);
        proof {
            lemma_join_step(lines, 9);
            assert(lines.take(10) =~= lines);
            assert(s@ =~= join_lines(lines.take(10)));
        }
        s
    }
}

/// The configuration, by value.
pub struct ConfigState {
    pub tcp_port: u16,
    pub replication: ReplicationState,
}

/// The server's configuration.
#[derive(Debug)]
pub struct Config {
    server_config: ServerConfig,
    replication_config: ReplicationConfig,
}

impl Clone for Config {
    /// A copy of the configuration.
    fn clone(&self) -> (c: Config)
        ensures
            c@ == self@,
    {
        proof {
            use_type_invariant(self);
        }
        let r = &self.replication_config;
        Config {
            server_config: ServerConfig { tcp_port: self.server_config.tcp_port },
            replication_config: ReplicationConfig {
                role: match r.role {
                    ReplicationRole::Master => ReplicationRole::Master,
                    ReplicationRole::Slave => ReplicationRole::Slave,
                },
                connected_slaves: r.connected_slaves,
                master_replid: r.master_replid.clone(),
                master_repl_offset: r.master_repl_offset,
                second_repl_offset: r.second_repl_offset,
                repl_backlog_active: r.repl_backlog_active,
                repl_backlog_size: r.repl_backlog_size,
                repl_backlog_first_byte_offset: r.repl_backlog_first_byte_offset,
                repl_backlog_histlen: r.repl_backlog_histlen,
            },
        }
    }
}

/// Whether a text holds only ASCII letters and digits.
pub open spec fn alphanumeric(s: Seq<char>) -> bool {
    forall|i: int| 0 <= i < s.len() ==> is_alphanumeric_char(#[trigger] s[i])
}

impl Config {
    /// The replication id of every configuration holds only ASCII letters
    /// and digits.
    #[verifier::type_invariant]
    spec fn replid_is_alphanumeric(self) -> bool {
        alphanumeric(self.replication_config.master_replid@)
    }
}

impl View for Config {
    type V = ConfigState;

    closed spec fn view(&self) -> ConfigState {
        ConfigState { tcp_port: self.server_config@, replication: self.replication_config@ }
    }
}

/// A configuration as a server starts with: on `port` (the default port
/// where there is none), a replica or a master, with no replicas, offsets at
/// 0 and a backlog of 1048576 bytes. A master has a replication id of 40
/// ASCII letters and digits; a replica has none.
pub open spec fn fresh_config(c: ConfigState, port: Option<u16>, is_replication: bool) -> bool {
    &&& c.tcp_port == match port {
        Some(p) => p,
        None => DEFAULT_PORT,
    }
    &&& c.replication.role == if is_replication {
        ReplicationRole::Slave
    } else {
        ReplicationRole::Master
    }
    &&& is_replication ==> c.replication.master_replid == Seq::<char>::empty()
    &&& !is_replication ==> c.replication.master_replid.len() == 40
    &&& forall|i: int|
        0 <= i < c.replication.master_replid.len() ==> is_alphanumeric_char(
            #[trigger] c.replication.master_replid[i],
        )
    &&& c.replication.connected_slaves == 0
    &&& c.replication.master_repl_offset == 0
    &&& c.replication.second_repl_offset == 0
    &&& c.replication.repl_backlog_active == 0
    &&& c.replication.repl_backlog_size == 1048576
    &&& c.replication.repl_backlog_first_byte_offset == 0
    &&& c.replication.repl_backlog_histlen == 0
}

impl Config {
    /// The configuration of a server on `port` (the default port where
    /// there is none), a replica or a master. A master gets a random
    /// replication id of 40 letters and digits; a replica gets none.
    pub fn new(port: Option<u16>, is_replication: bool) -> (c: Config)
        ensures
            fresh_config(c@, port, is_replication),
    {
        Config {
            server_config: ServerConfig {
                tcp_port: match port {
                    Some(port) => port,
                    None => DEFAULT_PORT,
                },
            },
            replication_config: ReplicationConfig {
                role: if is_replication {
                    ReplicationRole::Slave
                } else {
                    ReplicationRole::Master
                },
                connected_slaves: 0,
                master_replid: if is_replication {
                    String::new()
                } else {
                    random_string(40)
                },
                master_repl_offset: 0,
                second_repl_offset: 0,
                repl_backlog_active: 0,
                repl_backlog_size: 1048576,
                repl_backlog_first_byte_offset: 0,
                repl_backlog_histlen: 0,
            },
        }
    }

    /// The server's role in replication.
    pub fn role(&self) -> (role: &ReplicationRole)
        ensures
            *role == self@.replication.role,
    {
        &self.replication_config.role
    }

    /// The text `INFO server` reports.
    pub fn server(&self) -> (s: String)
        ensures
            s@ == server_text(self@.tcp_port),
    {
        self.server_config.to_string()
    }

    /// The port the server listens on.
    pub fn server_tcp_port(&self) -> (port: u16)
        ensures
            port == self@.tcp_port,
    {
        self.server_config.tcp_port
    }

    /// The text `INFO replication` reports.
    pub fn replication(&self) -> (s: String)
        ensures
            s@ == replication_text(self@.replication),
            alphanumeric(self@.replication.master_replid),
    {
        proof {
            use_type_invariant(self);
        }
        self.replication_config.to_string()
    }

    /// The master's replication id and replication offset.
    pub fn master_replid_and_offset(&self) -> (r: (String, usize))
        ensures
            r.0@ == self@.replication.master_replid,
            alphanumeric(r.0@),
            r.1 == self@.replication.master_repl_offset,
    {
        proof {
            use_type_invariant(self);
        }
        (self.replication_config.master_replid.clone(), self.replication_config.master_repl_offset)
    }

    /// Sets the second replication offset; nothing else changes.
    pub fn set_second_repl_offset(&mut self, offset: usize)
        ensures
            final(self)@ == (ConfigState {
                replication: ReplicationState { second_repl_offset: offset, ..old(self)@.replication },
                ..old(self)@
            }),
    {
        proof {
            use_type_invariant(&*self);
        }
        self.replication_config.second_repl_offset = offset;
    }
}

} // verus!
