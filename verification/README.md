# aloha

A terminal chat room: one server relays every message a client sends to all
the other clients in the room.

- `src/` is the verified library (Verus):
  - `frame.rs`: the wire protocol (a two-byte big-endian length, then the
    UTF-8 bytes) and the round trip of a frame;
  - `text.rs`: lossy decoding, trimming, the relayed line, notice styling;
  - `room.rs`: the room's membership and the plan of each relay;
  - `session.rs`: the server's per-client session machine and relay loop;
  - `client.rs`: the client's input, writer and receiver decisions;
  - `error.rs`: the failures and the words reported for them.
- `app/` is the program around it: sockets, threads, channels, the terminal
  and Ctrl-C handling. Run it with no argument to start a server (and join it),
  or with a server's IP address to join that server.
- `tests/` runs the library on concrete values.
