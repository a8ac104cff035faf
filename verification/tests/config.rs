use redis::config::{Config, ReplicationRole};
use redis::startup::configure;
use redis::DEFAULT_PORT;

#[test]
fn new_master_config_has_a_random_alphanumeric_replid() {
    let c = Config::new(None, false);
    assert_eq!(c.server_tcp_port(), DEFAULT_PORT);
    assert_eq!(c.server_tcp_port(), 6379);
    assert_eq!(c.role(), &ReplicationRole::Master);
    let (replid, offset) = c.master_replid_and_offset();
    assert_eq!(replid.len(), 40);
    assert!(replid.chars().all(|ch| ch.is_ascii_alphanumeric()));
    assert_eq!(offset, 0);
}

#[test]
fn new_replica_config_has_no_replid() {
    let c = Config::new(Some(7000), true);
    assert_eq!(c.server_tcp_port(), 7000);
    assert_eq!(c.role(), &ReplicationRole::Slave);
    let (replid, offset) = c.master_replid_and_offset();
    assert_eq!(replid, "");
    assert_eq!(offset, 0);
}

#[test]
fn server_text() {
    let c = Config::new(Some(6380), true);
    assert_eq!(c.server(), "# Server\ntcp_port:6380\n");
}

#[test]
fn replication_text_of_a_replica() {
    let c = Config::new(None, true);
    assert_eq!(
        c.replication(),
        "# Replication\nrole:slave\nconnected_slaves:0\nmaster_replid:\nmaster_repl_offset:0\n\
         second_repl_offset:0\nrepl_backlog_active:0\nrepl_backlog_size:1048576\n\
         repl_backlog_first_byte_offset:0\nrepl_backlog_histlen:0\n"
    );
}

#[test]
fn replication_text_of_a_master_names_its_replid() {
    let c = Config::new(None, false);
    let (replid, _) = c.master_replid_and_offset();
    let expected = format!(
        "# Replication\nrole:master\nconnected_slaves:0\nmaster_replid:{}\nmaster_repl_offset:0\n\
         second_repl_offset:0\nrepl_backlog_active:0\nrepl_backlog_size:1048576\n\
         repl_backlog_first_byte_offset:0\nrepl_backlog_histlen:0\n",
        replid
    );
    assert_eq!(c.replication(), expected);
}

#[test]
fn replication_text_is_ten_lines() {
    for c in [Config::new(None, false), Config::new(Some(1), true)] {
        let text = c.replication();
        assert!(text.ends_with('\n'));
        let lines: Vec<&str> = text.lines().collect();
        assert_eq!(lines.len(), 10);
        assert_eq!(lines[0], "# Replication");
        assert_eq!(lines[1], format!("role:{}", c.role().to_string()));
        assert_eq!(lines[3], format!("master_replid:{}", c.master_replid_and_offset().0));
        assert_eq!(lines[4], format!("master_repl_offset:{}", c.master_replid_and_offset().1));
    }
}

#[test]
fn cloned_config_is_the_same() {
    let c = Config::new(Some(9), false);
    let d = c.clone();
    assert_eq!(c.replication(), d.replication());
    assert_eq!(c.server(), d.server());
}

#[test]
fn set_second_repl_offset_shows_in_replication_text() {
    let mut c = Config::new(None, true);
    c.set_second_repl_offset(17);
    assert!(c.replication().contains("\nsecond_repl_offset:17\n"));
}

#[test]
fn role_from_name_ignores_case() {
    assert_eq!(ReplicationRole::from("master"), ReplicationRole::Master);
    assert_eq!(ReplicationRole::from("MASTER"), ReplicationRole::Master);
    assert_eq!(ReplicationRole::from("Slave"), ReplicationRole::Slave);
    assert_eq!(ReplicationRole::from_name("sLaVe"), Some(ReplicationRole::Slave));
    assert_eq!(ReplicationRole::from_name("primary"), None);
    assert_eq!(ReplicationRole::from_name(""), None);
}

#[test]
fn role_names_read_back() {
    for role in [ReplicationRole::Master, ReplicationRole::Slave] {
        assert_eq!(ReplicationRole::from_name(&role.to_string()), Some(role));
    }
    assert_eq!(ReplicationRole::Master.to_string(), "master");
    assert_eq!(ReplicationRole::Slave.to_string(), "slave");
}

#[test]
fn configure_a_master() {
    let (c, master) = configure(Some(6380), None).unwrap();
    assert_eq!(c.server_tcp_port(), 6380);
    assert_eq!(c.role(), &ReplicationRole::Master);
    assert_eq!(master, None);
}

#[test]
fn configure_a_replica() {
    let (c, master) = configure(None, Some("localhost 6379".to_string())).unwrap();
    assert_eq!(c.server_tcp_port(), 6379);
    assert_eq!(c.role(), &ReplicationRole::Slave);
    assert_eq!(master, Some("localhost:6379".to_string()));
}

#[test]
fn configure_splits_on_any_white_space() {
    let (_, master) = configure(None, Some("  127.0.0.1 \t +0080 ".to_string())).unwrap();
    assert_eq!(master, Some("127.0.0.1:80".to_string()));
}

#[test]
fn configure_refuses_a_bad_replicaof() {
    assert!(configure(None, Some("localhost".to_string())).is_none());
    assert!(configure(None, Some("a b c".to_string())).is_none());
    assert!(configure(None, Some("localhost 70000".to_string())).is_none());
    assert!(configure(None, Some("localhost port".to_string())).is_none());
    assert!(configure(None, Some("".to_string())).is_none());
}
