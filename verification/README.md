# dispatcher

Message model of a set of throughput and latency benchmarks for message
dispatch over TCP and in-process channels.

`src/` is the verified library:

- `command` — the one-byte commands and their byte encoding;
- `timestamp` — instants after the Unix epoch, their RFC 3339 text with
  microseconds (written and read by `humantime`), elapsed time;
- `frame` — the fixed-size frames: building them (with random filler from
  `rand`) and reading their command, receiver number and send time;
- `routing` — the table of receiver channels and the routing decision;
- `connector`, `dispatcher`, `generator` — the per-message decisions of the
  three roles of the TCP dispatch model;
- `pipeline` — the decisions of the in-process variant;
- `report` — progress reporting of the thread and task benchmarks;
- `flow` — properties that span the roles.

`app/` holds the programs: sockets, channels, tasks and threads (tokio and
std), logging and configuration, driving the library's decisions. Each
benchmark program is a subcommand of one binary.

`tests/` runs the library on concrete values.
