# perftest

A TCP throughput tester in the style of iperf3: a server and a client agree
on a test over a control connection, open one or more data streams, move
data for a given time and exchange their per-stream statistics.

- `src/` is the library, verified with Verus: the control messages and their
  framing (`messages_handler`), test parameters and the per-side test state
  (`test_utils`), the controller's decisions (`controler`), the server's
  routing of connections (`server`), the client's cookie (`client`), the
  counters of a data stream (`tcptest`) and the UDP packet header
  (`udp_utils`). `buffers` states what the library relies on from the
  `bytes` crate.
- `app/` is the `testperf` program: argument parsing, sockets, async tasks,
  timers, JSON, and printing. It calls the library for every decision.
- `tests/` runs the library on concrete values.
