//! How a server starts: its configuration from the command line.

use vstd::prelude::*;
use vstd::utf8::*;

use crate::config::{Config, fresh_config};
use crate::text::{dec_chars, decimal_u16, lemma_u16_text_roundtrip, parse_u16, push_decimal, split_whitespace, words};

verus! {

/// The master's address that `--replicaof "<host> <port>"` names: the host
/// and the port, as `host:port`. `None` unless the text is two words of
/// which the second is a port number.
pub open spec fn master_address(replicaof: Seq<char>) -> Option<Seq<char>> {
    let parts = words(replicaof);
    if parts.len() == 2 {
        match decimal_u16(encode_utf8(parts[1])) {
            Some(p) => Some(parts[0] + ":"@ + dec_chars(p as nat)),
            None => None,
        }
    } else {
        None
    }
}

/// The configuration a server starts with, and the address of its master
/// if it is a replica, from the command line: the port to listen on and the
/// `--replicaof` text. `None` where `--replicaof` names no master (the
/// server does not start).
pub fn configure(port: Option<u16>, replicaof: Option<String>) -> (r: Option<(Config, Option<String>)>)
    ensures
        match replicaof {
            None => (r matches Some((c, m)) && m is None && fresh_config(c@, port, false)),
            Some(s) => match master_address(s@) {
                Some(addr) => (r matches Some((c, m)) && m matches Some(a) && a@ == addr && fresh_config(c@, port, true)),
                None => r is None,
            },
        },
{
    match replicaof {
        Some(replicaof) => {
            let parts = split_whitespace(replicaof.as_str());
            if parts.len() == 2 {
                assert(parts@[1]@ == words(replicaof@)[1]);
                assert(parts@[0]@ == words(replicaof@)[0]);
                match parse_u16(parts[1].as_str().as_bytes()) {
                    Some(master_port) => {
                        let mut master = parts[0].clone();
                        master.append(":");
                        push_decimal(&mut master, master_port as u64);
                        Some((Config::new(port, true), Some(master)))
                    },
                    None => None,
                }
            } else {
                None
            }
        },
        None => Some((Config::new(port, false), None)),
    }
}

/// `--replicaof` names a master exactly when it is two words whose second
/// is a port number; the master's address is then the first word, a `:`, and
/// a port text that reads back as the same port as the second word.
pub proof fn lemma_master_address(replicaof: Seq<char>)
    ensures
        master_address(replicaof) is Some <==> (words(replicaof).len() == 2 && decimal_u16(
            encode_utf8(words(replicaof)[1]),
        ) is Some),
        master_address(replicaof) matches Some(a) ==> {
            let host = words(replicaof)[0];
            &&& host.len() < a.len()
            &&& a.subrange(0, host.len() as int) == host
            &&& a[host.len() as int] == ':'
            &&& decimal_u16(encode_utf8(a.subrange(host.len() as int + 1, a.len() as int))) == decimal_u16(
                encode_utf8(words(replicaof)[1]),
            )
        },
{
    if let Some(a) = master_address(replicaof) {
        let parts = words(replicaof);
        let host = parts[0];
        let p = decimal_u16(encode_utf8(parts[1]))->Some_0;
        reveal_strlit(":");
        lemma_u16_text_roundtrip(p);
        assert(a =~= host + seq![':'] + dec_chars(p as nat));
        assert(a.subrange(0, host.len() as int) =~= host);
        assert(a.subrange(host.len() as int + 1, a.len() as int) =~= dec_chars(p as nat));
    }
}

} // verus!
