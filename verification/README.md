# udp_server

A small UDP game server and the load-testing client that plays against it.

Clients send protobuf-encoded events (join, move, shoot, leave) to the server on port 8080.
The server numbers each received event and queues it; every 16 ms a tick takes the whole
queue, applies the events in arrival order to the game, sends each resulting update to every
player, and moves the bullets along.

## Layout

- `src/` is the library, verified with Verus:
  - `message_queue.rs`: the queue of received events (arrival numbering, one copy of each
    message, first in first out);
  - `game_info.rs`: the roster of players, keyed by address, and the bullets in flight;
  - `bullet.rs`: bullets, which keep their identity and velocity and are put where the
    application computes they have flown to;
  - `inbound_server.rs`: the receive buffer and the framing that strips its filler bytes;
  - `input_messages`, `output_messages`: the protocol's messages, each `double` held by its
    bit pattern, and `ieee754.rs`, which compares such values as `f64` does;
  - `client.rs`: the client's identity, its events and its send schedule;
  - `ids.rs`, `utility.rs`: random UUIDs and their text, and the wall clock.
- `app/` is the program: sockets, locks, timers, protobuf coding, console output, and the
  floating-point physics (how far players move, a bullet's velocity, where a bullet flies
  in a tick). Run it with no
  argument for the server, or with `client` for five simulated clients.
- `tests/` runs the library on concrete values.
