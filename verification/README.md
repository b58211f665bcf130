# wreq-proto

The client side of HTTP/3 as verified decisions: what a request must be before
it is sent, in which order its stream is driven, how much of a body may pass,
how a CONNECT tunnel moves its bytes, and when a connection is drained, closed
or failed.

`src/` is the library. Each module models its state as plain values, states
every transition as a spec function, and proves the executable code equal to it
with [Verus](https://github.com/verus-lang/verus). What holds across functions,
such as that a drain waits for the acknowledgment of every FIN, stands there as
public proof functions whose names begin with `law_`. Header maps, byte buffers
and admission permits are those of `http`, `bytes` and `tokio`; the calls into
them are in `fields`, `buf` and `permits`.

- `headers`, `text`, `fields`: header fields and what they mean for framing
- `client`, `exchange`, `upload`, `body`: one request and its response
- `tunnel_io`, `tunnel_send`, `tunnel_recv`, `upgrade`: CONNECT tunnels
- `shared`, `permits`, `driver`, `conn`, `dispatch`: the connection
- `transport`, `compat`, `bounds`: what the library sits on

`app/` is the ordinary Rust around it: futures, locks and wakers, and the
contracts that an executor, a QUIC backend and an HTTP/3 layer fulfil.
