# tcp-over-ws-rust

Tunnels TCP and UDP traffic through WebSocket or gRPC connections.

```bash
tcp-over-ws-rust server 0.0.0.0:8080 127.0.0.1:5201
tcp-over-ws-rust client ws://your-server.com:8080 127.0.0.1:5200
```

The server takes `--protocol grpc` for gRPC; the client then takes a `grpc://`
address. A client listens on its local address for TCP connections and UDP packets
alike.

## Layout

- `src/` holds every decision, written in Rust and verified with Verus: how a
  server address is read and its fastest IP address chosen, how tunnels are named,
  registered and pruned, how they are opened, and what each relay loop does on each
  event. A loop is a state machine: its `step` takes an event and returns the action
  that it calls for, and its contract gives the next state and the action exactly.
  The laws of the tunnel are the public proof functions: above all, that what one
  end reads the other end writes, unchanged and in order.
- `app/` performs the actions: it owns the sockets, timers and streams.
- `tests/` runs the library on concrete values.

## What is trusted

Five small functions call other crates, and Verus takes their contracts on trust:
`random_bits` and `simple_text` in `tunnel_id` (the `uuid` crate), `parse`,
`set_ip_host` and `host_word` in `resolve` (the `url` crate).
