# redis

A small Redis server library, verified with Verus.

- `src/frame.rs`: RESP frames and their values (`SpecFrame`).
- `src/parse.rs`: a cursor over the fields of a command frame.
- `src/cmd/`: the commands (`PING`, `ECHO`, `INFO`, `REPLCONF`, `PSYNC`, unknown
  ones): reading them from frames, the frames a client sends, and the replies.
  Proof functions there state that what a client sends reads back as the same
  command.
- `src/config.rs`: the server's configuration and the texts `INFO` reports.
- `src/startup.rs`: the configuration from the command line.
- `src/clients/replica_client.rs`: what a replica makes of its master's replies.
- `src/text.rs`: decimal rendering and parsing, and the string operations of
  std the rest builds on.
- `app/`: the command line, the connection abstraction, the replica's client
  and the writing of replies.

The replication id of a master is 40 random ASCII letters and digits, drawn
with the `rand` crate (`Alphanumeric` on the thread's generator).

The protocol's `GET`, `SET`, `PUBLISH`, `SUBSCRIBE` and `UNSUBSCRIBE`
commands are not implemented here: a frame naming one of them is refused
with `Error::UnsupportedCommand`.
